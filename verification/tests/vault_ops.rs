use super_token::create_vault;
use super_token::mint_to;
use super_token::redeem;
use super_token::CreateSaberVault;
use super_token::ErrorCode;
use super_token::MintTo;
use super_token::Redeem;
use super_token::SaberVault;
use super_token::TokenAccount;
use super_token::VaultRegistry;

fn fresh_vault() -> SaberVault {
    let mut reg = VaultRegistry::new();
    let req = CreateSaberVault {
        mint_u: 7,
        start_time: 1_000,
        end_time: 2_000,
    };
    create_vault(&mut reg, req).expect("fresh triple must be accepted")
}

fn issue_accounts(vault: &SaberVault, authority: u64, funds: u64) -> MintTo {
    MintTo {
        authority,
        token_u_from: TokenAccount {
            mint: vault.mint_u,
            owner: authority,
            balance: funds,
        },
        token_p: TokenAccount {
            mint: vault.mint_p,
            owner: authority,
            balance: 0,
        },
        token_y: TokenAccount {
            mint: vault.mint_y,
            owner: authority,
            balance: 0,
        },
    }
}

#[test]
fn create_vault_allocates_fresh_empty_vault() {
    let mut reg = VaultRegistry::new();
    let req = CreateSaberVault {
        mint_u: 7,
        start_time: 1_000,
        end_time: 2_000,
    };
    let vault = create_vault(&mut reg, req).expect("fresh triple must be accepted");
    assert_eq!(vault.mint_u, 7);
    assert_eq!(vault.start_time, 1_000);
    assert_eq!(vault.end_time, 2_000);
    assert_eq!(vault.reserve, 0);
    assert_eq!(vault.supply_p, 0);
    assert_eq!(vault.supply_y, 0);
    // the four allocated identifiers are pairwise distinct and none aliases
    // the underlying asset
    let ids = [vault.address, vault.token_u, vault.mint_p, vault.mint_y];
    for i in 0..ids.len() {
        assert_ne!(ids[i], vault.mint_u);
        for j in 0..i {
            assert_ne!(ids[i], ids[j]);
        }
    }
}

#[test]
fn create_vault_skips_underlying_id_on_collision() {
    let mut reg = VaultRegistry::new();
    // the registry's first free identifier is 1; an underlying asset with
    // identifier 2 lies inside the block that would be allocated
    let req = CreateSaberVault {
        mint_u: 2,
        start_time: 0,
        end_time: 0,
    };
    let vault = create_vault(&mut reg, req).expect("fresh triple must be accepted");
    assert_ne!(vault.address, 2);
    assert_ne!(vault.token_u, 2);
    assert_ne!(vault.mint_p, 2);
    assert_ne!(vault.mint_y, 2);
}

#[test]
fn create_vault_twice_same_triple_fails() {
    let mut reg = VaultRegistry::new();
    let req = CreateSaberVault {
        mint_u: 7,
        start_time: 1_000,
        end_time: 2_000,
    };
    assert!(create_vault(&mut reg, req).is_ok());
    assert_eq!(
        create_vault(&mut reg, req),
        Err(ErrorCode::AddressAlreadyInUse)
    );
    // a different triple is still accepted
    let other = CreateSaberVault {
        mint_u: 7,
        start_time: 1_000,
        end_time: 3_000,
    };
    assert!(create_vault(&mut reg, other).is_ok());
}

#[test]
fn round_trip_restores_depositor_and_empties_vault() {
    let mut vault = fresh_vault();
    let mut acc = issue_accounts(&vault, 100, 250);
    assert_eq!(mint_to(&mut vault, &mut acc, 100), Ok(()));
    assert_eq!(acc.token_u_from.balance, 150);
    assert_eq!(acc.token_p.balance, 100);
    assert_eq!(acc.token_y.balance, 100);
    assert_eq!(vault.reserve, 100);
    assert_eq!(vault.supply_p, 100);
    assert_eq!(vault.supply_y, 100);

    let mut back = Redeem {
        authority: 100,
        token_p: acc.token_p,
        token_y: acc.token_y,
        token_u_to: acc.token_u_from,
    };
    assert_eq!(redeem(&mut vault, &mut back, 100), Ok(()));
    assert_eq!(back.token_u_to.balance, 250);
    assert_eq!(back.token_p.balance, 0);
    assert_eq!(back.token_y.balance, 0);
    assert_eq!(vault.reserve, 0);
    assert_eq!(vault.supply_p, 0);
    assert_eq!(vault.supply_y, 0);
}

#[test]
fn conservation_holds_after_every_call() {
    let mut vault = fresh_vault();
    let mut acc = issue_accounts(&vault, 100, 1_000);
    let conserved = |v: &SaberVault| v.supply_p == v.supply_y && v.supply_y == v.reserve;

    assert_eq!(mint_to(&mut vault, &mut acc, 300), Ok(()));
    assert!(conserved(&vault));
    assert_eq!(mint_to(&mut vault, &mut acc, 200), Ok(()));
    assert!(conserved(&vault));

    let mut back = Redeem {
        authority: 100,
        token_p: acc.token_p,
        token_y: acc.token_y,
        token_u_to: acc.token_u_from,
    };
    assert_eq!(redeem(&mut vault, &mut back, 150), Ok(()));
    assert!(conserved(&vault));
    assert_eq!(redeem(&mut vault, &mut back, 350), Ok(()));
    assert!(conserved(&vault));
    assert_eq!(vault.reserve, 0);
    // a failing call also leaves the invariant intact
    assert_eq!(
        redeem(&mut vault, &mut back, 1),
        Err(ErrorCode::BurnPrincipalToken)
    );
    assert!(conserved(&vault));
}

#[test]
fn issue_insufficient_funds_mutates_nothing() {
    let mut vault = fresh_vault();
    let mut acc = issue_accounts(&vault, 100, 99);
    let vault_before = vault;
    let acc_before = acc;
    assert_eq!(
        mint_to(&mut vault, &mut acc, 100),
        Err(ErrorCode::InsufficientUnderlyingFunds)
    );
    assert_eq!(vault, vault_before);
    assert_eq!(acc, acc_before);
}

#[test]
fn issue_yield_mint_failure_leaves_no_trace() {
    let mut vault = fresh_vault();
    let mut acc = issue_accounts(&vault, 100, 250);
    // force the yield mint to fail: its destination cannot take one more unit
    acc.token_y.balance = u64::MAX;
    let vault_before = vault;
    let acc_before = acc;
    assert_eq!(
        mint_to(&mut vault, &mut acc, 100),
        Err(ErrorCode::MintYieldToken)
    );
    // the prior transfer and principal mint are not observable afterward
    assert_eq!(vault.reserve, vault_before.reserve);
    assert_eq!(vault.supply_p, vault_before.supply_p);
    assert_eq!(vault, vault_before);
    assert_eq!(acc, acc_before);
}

#[test]
fn issue_principal_mint_overflow_fails() {
    let mut vault = fresh_vault();
    let mut acc = issue_accounts(&vault, 100, 250);
    acc.token_p.balance = u64::MAX;
    assert_eq!(
        mint_to(&mut vault, &mut acc, 100),
        Err(ErrorCode::MintPrincipalToken)
    );
}

#[test]
fn issue_deposit_overflow_fails() {
    let mut vault = fresh_vault();
    let mut acc = issue_accounts(&vault, 100, u64::MAX);
    // fill the reserve completely, then one more deposit cannot be taken
    assert_eq!(mint_to(&mut vault, &mut acc, u64::MAX), Ok(()));
    let mut more = issue_accounts(&vault, 100, 10);
    assert_eq!(
        mint_to(&mut vault, &mut more, 10),
        Err(ErrorCode::DepositUnderlyingToken)
    );
}

#[test]
fn issue_wrong_asset_type_fails() {
    let mut vault = fresh_vault();
    let mut acc = issue_accounts(&vault, 100, 250);
    acc.token_p.mint = vault.mint_y;
    assert_eq!(
        mint_to(&mut vault, &mut acc, 100),
        Err(ErrorCode::InvalidAccountBinding)
    );
}

#[test]
fn issue_without_depositor_authority_fails() {
    let mut vault = fresh_vault();
    let mut acc = issue_accounts(&vault, 100, 250);
    acc.token_u_from.owner = 999;
    assert_eq!(
        mint_to(&mut vault, &mut acc, 100),
        Err(ErrorCode::InvalidAccountBinding)
    );
}

fn issued_vault_and_claims(amount: u64) -> (SaberVault, Redeem) {
    let mut vault = fresh_vault();
    let mut acc = issue_accounts(&vault, 100, amount);
    assert_eq!(mint_to(&mut vault, &mut acc, amount), Ok(()));
    let back = Redeem {
        authority: 100,
        token_p: acc.token_p,
        token_y: acc.token_y,
        token_u_to: acc.token_u_from,
    };
    (vault, back)
}

#[test]
fn redeem_decreases_both_supplies_and_reserve_equally() {
    let (mut vault, mut back) = issued_vault_and_claims(100);
    assert_eq!(redeem(&mut vault, &mut back, 40), Ok(()));
    assert_eq!(vault.supply_p, 60);
    assert_eq!(vault.supply_y, 60);
    assert_eq!(vault.reserve, 60);
    assert_eq!(back.token_p.balance, 60);
    assert_eq!(back.token_y.balance, 60);
    assert_eq!(back.token_u_to.balance, 40);
}

#[test]
fn redeem_insufficient_principal_fails() {
    let (mut vault, mut back) = issued_vault_and_claims(100);
    back.token_p.balance = 30;
    let vault_before = vault;
    assert_eq!(
        redeem(&mut vault, &mut back, 50),
        Err(ErrorCode::BurnPrincipalToken)
    );
    assert_eq!(vault, vault_before);
}

#[test]
fn redeem_insufficient_yield_fails() {
    let (mut vault, mut back) = issued_vault_and_claims(100);
    back.token_y.balance = 30;
    assert_eq!(
        redeem(&mut vault, &mut back, 50),
        Err(ErrorCode::BurnYieldToken)
    );
}

#[test]
fn redeem_destination_overflow_fails() {
    let (mut vault, mut back) = issued_vault_and_claims(100);
    back.token_u_to.balance = u64::MAX;
    let vault_before = vault;
    let back_before = back;
    assert_eq!(
        redeem(&mut vault, &mut back, 50),
        Err(ErrorCode::WithdrawUnderlyingToken)
    );
    assert_eq!(vault, vault_before);
    assert_eq!(back, back_before);
}

#[test]
fn redeem_wrong_claim_type_fails() {
    let (mut vault, mut back) = issued_vault_and_claims(100);
    back.token_p.mint = vault.mint_u;
    assert_eq!(
        redeem(&mut vault, &mut back, 50),
        Err(ErrorCode::InvalidAccountBinding)
    );
}

#[test]
fn redeem_without_burn_authority_fails() {
    let (mut vault, mut back) = issued_vault_and_claims(100);
    back.token_y.owner = 999;
    assert_eq!(
        redeem(&mut vault, &mut back, 50),
        Err(ErrorCode::InvalidAccountBinding)
    );
}

#[test]
fn redeem_wrong_destination_type_fails() {
    let (mut vault, mut back) = issued_vault_and_claims(100);
    back.token_u_to.mint = vault.mint_p;
    assert_eq!(
        redeem(&mut vault, &mut back, 50),
        Err(ErrorCode::InvalidAccountBinding)
    );
}
