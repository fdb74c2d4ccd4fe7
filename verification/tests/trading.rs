use vault::ops::{deactivate_vault, deposit, grant_bot_authority, initialize_vault};
use vault::state::{AccountId, VaultError};
use vault::trade::{authorize_trade, bot_trade, settle_trade};

fn id(n: u8) -> AccountId {
    AccountId { bytes: [n; 32] }
}

fn route() -> Vec<u8> {
    vec![1, 2, 3, 4]
}

#[test]
fn trade_on_inactive_vault_fails_whatever_the_delegation() {
    let mut v = initialize_vault(id(1), 0, 255);
    grant_bot_authority(&mut v, id(2));
    deactivate_vault(&mut v);
    let r = bot_trade(
        &v, &id(9), &id(2), &id(3), &id(4), 1_000, 900, &route(), &id(5), 10_000, 950, 77,
    );
    assert_eq!(r, Err(VaultError::VaultInactive));
}

#[test]
fn trade_by_the_wrong_caller_fails() {
    let mut v = initialize_vault(id(1), 0, 255);
    grant_bot_authority(&mut v, id(2));
    let r = bot_trade(
        &v, &id(9), &id(6), &id(3), &id(4), 1_000, 900, &route(), &id(5), 10_000, 950, 77,
    );
    assert_eq!(r, Err(VaultError::UnauthorizedBot));
}

#[test]
fn trade_with_no_delegate_fails() {
    let v = initialize_vault(id(1), 0, 255);
    let r = bot_trade(
        &v, &id(9), &id(2), &id(3), &id(4), 1_000, 900, &route(), &id(5), 10_000, 950, 77,
    );
    assert_eq!(r, Err(VaultError::UnauthorizedBot));
}

#[test]
fn trade_with_zero_amounts_fails() {
    let mut v = initialize_vault(id(1), 0, 255);
    grant_bot_authority(&mut v, id(2));
    let r = bot_trade(&v, &id(9), &id(2), &id(3), &id(4), 0, 900, &route(), &id(5), 10_000, 950, 77);
    assert_eq!(r, Err(VaultError::InvalidAmount));
    let r = bot_trade(&v, &id(9), &id(2), &id(3), &id(4), 1_000, 0, &route(), &id(5), 10_000, 950, 77);
    assert_eq!(r, Err(VaultError::InvalidAmount));
}

#[test]
fn trade_with_an_empty_route_fails() {
    let mut v = initialize_vault(id(1), 0, 255);
    grant_bot_authority(&mut v, id(2));
    let empty: Vec<u8> = Vec::new();
    let r = bot_trade(
        &v, &id(9), &id(2), &id(3), &id(4), 1_000, 900, &empty, &id(5), 10_000, 950, 77,
    );
    assert_eq!(r, Err(VaultError::InvalidRouteData));
}

#[test]
fn trade_through_an_absent_router_fails() {
    let mut v = initialize_vault(id(1), 0, 255);
    grant_bot_authority(&mut v, id(2));
    let zero = AccountId { bytes: [0; 32] };
    let r = bot_trade(
        &v, &id(9), &id(2), &id(3), &id(4), 1_000, 900, &route(), &zero, 10_000, 950, 77,
    );
    assert_eq!(r, Err(VaultError::InvalidRouteData));
}

#[test]
fn trade_beyond_the_holding_balance_fails() {
    let mut v = initialize_vault(id(1), 0, 255);
    grant_bot_authority(&mut v, id(2));
    let r = bot_trade(
        &v, &id(9), &id(2), &id(3), &id(4), 10_001, 900, &route(), &id(5), 10_000, 950, 77,
    );
    assert_eq!(r, Err(VaultError::InsufficientFunds));
}

#[test]
fn slippage_scenario() {
    // The delegate asks to swap 1,000,000 units with a 950,000-unit floor;
    // the router realizes only 940,000, so the trade fails and the vault
    // record is untouched.
    let mut v = initialize_vault(id(1), 0, 255);
    assert_eq!(deposit(&mut v, 2_000_000, None), Ok(()));
    grant_bot_authority(&mut v, id(2));
    let before = v;
    let r = bot_trade(
        &v,
        &id(9),
        &id(2),
        &id(3),
        &id(4),
        1_000_000,
        950_000,
        &route(),
        &id(5),
        2_000_000,
        940_000,
        77,
    );
    assert_eq!(r, Err(VaultError::SlippageExceeded));
    assert_eq!(v, before);
}

#[test]
fn successful_trade_emits_a_faithful_audit_record() {
    let mut v = initialize_vault(id(1), 0, 255);
    grant_bot_authority(&mut v, id(2));
    let r = bot_trade(
        &v,
        &id(9),
        &id(2),
        &id(3),
        &id(4),
        1_000_000,
        950_000,
        &route(),
        &id(5),
        2_000_000,
        960_000,
        77,
    );
    let rec = r.expect("trade should settle");
    assert_eq!(rec.vault, id(9));
    assert_eq!(rec.bot_authority, id(2));
    assert_eq!(rec.input_mint, id(3));
    assert_eq!(rec.output_mint, id(4));
    assert_eq!(rec.amount_in, 1_000_000);
    assert_eq!(rec.amount_out, 960_000);
    assert_eq!(rec.minimum_amount_out, 950_000);
    assert_eq!(rec.timestamp, 77);
}

#[test]
fn checks_run_cheapest_first() {
    // Even with several violations at once, the active check rejects before
    // the authorization check, and that before validation.
    let mut v = initialize_vault(id(1), 0, 255);
    deactivate_vault(&mut v);
    let empty: Vec<u8> = Vec::new();
    let r = authorize_trade(&v, &id(6), 0, 0, &empty, &id(5), 0);
    assert_eq!(r, Err(VaultError::VaultInactive));
    let mut v = initialize_vault(id(1), 0, 255);
    grant_bot_authority(&mut v, id(2));
    let r = authorize_trade(&v, &id(6), 0, 0, &empty, &id(5), 0);
    assert_eq!(r, Err(VaultError::UnauthorizedBot));
    let r = authorize_trade(&v, &id(2), 0, 0, &empty, &id(5), 0);
    assert_eq!(r, Err(VaultError::InvalidAmount));
    let r = authorize_trade(&v, &id(2), 1_000, 900, &empty, &id(5), 0);
    assert_eq!(r, Err(VaultError::InvalidRouteData));
    let r = authorize_trade(&v, &id(2), 1_000, 900, &route(), &id(5), 0);
    assert_eq!(r, Err(VaultError::InsufficientFunds));
    let r = authorize_trade(&v, &id(2), 1_000, 900, &route(), &id(5), 1_000);
    assert_eq!(r, Ok(()));
}

#[test]
fn settlement_holds_the_realized_output_to_the_floor() {
    let r = settle_trade(&id(9), &id(2), &id(3), &id(4), 1_000, 900, 899, 5);
    assert_eq!(r, Err(VaultError::SlippageExceeded));
    let rec = settle_trade(&id(9), &id(2), &id(3), &id(4), 1_000, 900, 900, 5)
        .expect("floor met exactly");
    assert_eq!(rec.amount_out, 900);
}
