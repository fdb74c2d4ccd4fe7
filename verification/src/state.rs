//! The vault record and the identities, errors and audit events its
//! operations speak of.

use vstd::prelude::*;

verus! {

/// A 32-byte principal identity: an owner, a delegate, a token mint, a
/// program, or the vault's own address.
#[derive(Clone, Copy, Debug, PartialEq, Eq)]
pub struct AccountId {
    pub bytes: [u8; 32],
}

/// Byte-for-byte comparison of two identities.
pub fn account_id_eq(a: &AccountId, b: &AccountId) -> (r: bool)
    ensures
        r == (*a == *b),
        r == (a.bytes@ == b.bytes@),
{
    let mut i: usize = 0;
    while i < 32
        invariant
            0 <= i <= 32,
            forall|j: int| 0 <= j < i ==> a.bytes@[j] == b.bytes@[j],
        decreases 32 - i,
    {
        if a.bytes[i] != b.bytes[i] {
            return false;
        }
        i += 1;
    }
    proof {
        assert(a.bytes =~= b.bytes);
    }
    true
}

/// Whether an identity is the all-zero one. It names no real principal; a
/// router reference equal to it is treated as absent.
pub open spec fn is_zero_id(a: AccountId) -> bool {
    forall|i: int| 0 <= i < 32 ==> a.bytes@[i] == 0
}

/// The all-zero identity.
pub fn account_id_zero() -> (r: AccountId)
    ensures
        is_zero_id(r),
{
    AccountId { bytes: [0u8; 32] }
}

/// Decides whether an identity is the all-zero one.
pub fn account_id_is_zero(a: &AccountId) -> (r: bool)
    ensures
        r == is_zero_id(*a),
{
    let mut i: usize = 0;
    while i < 32
        invariant
            0 <= i <= 32,
            forall|j: int| 0 <= j < i ==> a.bytes@[j] == 0,
        decreases 32 - i,
    {
        if a.bytes[i] != 0 {
            return false;
        }
        i += 1;
    }
    true
}

/// One owner's vault record: balance bookkeeping, the single revocable
/// delegation slot, the emergency-stop flag, and the data needed to
/// re-derive the vault's signing authority.
///
/// `total_deposited` is a bookkeeping counter of net owner deposits minus
/// withdrawals; the token ledger remains authoritative for actual balances.
#[derive(Clone, Copy, Debug, PartialEq, Eq)]
pub struct VaultAccount {
    /// The controlling principal. Immutable after creation.
    pub owner: AccountId,
    /// Net owner-initiated deposits minus withdrawals, in base units.
    pub total_deposited: u64,
    /// The sole identity permitted to invoke trade execution, if any.
    pub bot_authority: Option<AccountId>,
    /// When false, all bot-initiated trades are blocked.
    pub is_active: bool,
    /// Creation timestamp, set once.
    pub created_at: i64,
    /// Bump seed that reproduces the vault's derived signing authority.
    pub bump: u8,
}

/// Why an operation refused to run. Every failure leaves the vault record
/// exactly as it was before the call.
#[derive(Clone, Copy, Debug, PartialEq, Eq, Structural)]
pub enum VaultError {
    /// The vault is not active.
    VaultInactive,
    /// Invalid amount specified.
    InvalidAmount,
    /// Insufficient funds in vault.
    InsufficientFunds,
    /// Unauthorized bot attempted to trade.
    UnauthorizedBot,
    /// Arithmetic overflow.
    Overflow,
    /// Arithmetic underflow.
    Underflow,
    /// Invalid route data provided.
    InvalidRouteData,
    /// Slippage exceeded maximum tolerance.
    SlippageExceeded,
    /// Deposit cap exceeded for this vault.
    DepositCapExceeded,
    /// A vault already exists for this owner.
    AlreadyExists,
}

impl VaultError {
    /// A human-readable description of the error.
    pub fn message(&self) -> &'static str {
        match *self {
            VaultError::VaultInactive => "The vault is not active",
            VaultError::InvalidAmount => "Invalid amount specified",
            VaultError::InsufficientFunds => "Insufficient funds in vault",
            VaultError::UnauthorizedBot => "Unauthorized bot attempted to trade",
            VaultError::Overflow => "Arithmetic overflow",
            VaultError::Underflow => "Arithmetic underflow",
            VaultError::InvalidRouteData => "Invalid route data provided",
            VaultError::SlippageExceeded => "Slippage exceeded maximum tolerance",
            VaultError::DepositCapExceeded => "Deposit cap exceeded for this vault",
            VaultError::AlreadyExists => "A vault already exists for this owner",
        }
    }
}

/// The durable audit record of one successful trade.
#[derive(Clone, Copy, Debug, PartialEq, Eq)]
pub struct TradeExecuted {
    /// The vault that executed the trade.
    pub vault: AccountId,
    /// The delegate that initiated the trade.
    pub bot_authority: AccountId,
    /// The input token mint (what was sold).
    pub input_mint: AccountId,
    /// The output token mint (what was bought).
    pub output_mint: AccountId,
    /// Actual amount of input tokens used.
    pub amount_in: u64,
    /// Actual amount of output tokens received.
    pub amount_out: u64,
    /// The slippage floor the trade was required to honor.
    pub minimum_amount_out: u64,
    /// When the trade was executed.
    pub timestamp: i64,
}

} // verus!
