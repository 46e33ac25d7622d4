use vstd::prelude::*;

use crate::accounts::MintTo;
use crate::accounts::SaberVault;
use crate::accounts::TokenAccount;
use crate::accounts::vault_conserved;
use crate::errors::ErrorCode;

verus! {

/// The first failing check of the issuance protocol, in protocol order, or
/// `None` when every check and every ledger sub-step succeeds.
///
/// Checks, in order: the depositor's balance covers the deposit; the three
/// supplied accounts hold the asset types the vault prescribes; the caller
/// holds transfer authority over the depositor account. Then the sub-steps,
/// each of which fails exactly when a balance or supply it credits would
/// overflow its ledger cell: the deposit transfer into the reserve, the
/// principal mint, the yield mint.
pub open spec fn mint_to_err(v: SaberVault, a: MintTo, amount: u64) -> Option<ErrorCode> {
    if a.token_u_from.balance < amount {
        Some(ErrorCode::InsufficientUnderlyingFunds)
    } else if a.token_u_from.mint != v.mint_u || a.token_p.mint != v.mint_p
        || a.token_y.mint != v.mint_y {
        Some(ErrorCode::InvalidAccountBinding)
    } else if a.token_u_from.owner != a.authority {
        Some(ErrorCode::InvalidAccountBinding)
    } else if v.reserve + amount > u64::MAX {
        Some(ErrorCode::DepositUnderlyingToken)
    } else if v.supply_p + amount > u64::MAX || a.token_p.balance + amount > u64::MAX {
        Some(ErrorCode::MintPrincipalToken)
    } else if v.supply_y + amount > u64::MAX || a.token_y.balance + amount > u64::MAX {
        Some(ErrorCode::MintYieldToken)
    } else {
        None
    }
}

/// The vault after a successful issuance of `amount`: the reserve and both
/// claim supplies grow by exactly `amount`; the identifying fields are
/// untouched.
pub open spec fn mint_to_vault(v: SaberVault, amount: u64) -> SaberVault
    recommends
        v.reserve + amount <= u64::MAX,
        v.supply_p + amount <= u64::MAX,
        v.supply_y + amount <= u64::MAX,
{
    SaberVault {
        reserve: (v.reserve + amount) as u64,
        supply_p: (v.supply_p + amount) as u64,
        supply_y: (v.supply_y + amount) as u64,
        ..v
    }
}

/// The caller-side accounts after a successful issuance of `amount`: the
/// depositor account loses `amount`, each claim destination gains `amount`.
pub open spec fn mint_to_accounts(a: MintTo, amount: u64) -> MintTo
    recommends
        amount <= a.token_u_from.balance,
        a.token_p.balance + amount <= u64::MAX,
        a.token_y.balance + amount <= u64::MAX,
{
    MintTo {
        token_u_from: TokenAccount {
            balance: (a.token_u_from.balance - amount) as u64,
            ..a.token_u_from
        },
        token_p: TokenAccount { balance: (a.token_p.balance + amount) as u64, ..a.token_p },
        token_y: TokenAccount { balance: (a.token_y.balance + amount) as u64, ..a.token_y },
        ..a
    }
}

/// Issuance: deposits `amount` of underlying asset from the depositor's
/// account into the vault's reserve and mints `amount` of the principal claim
/// and `amount` of the yield claim into the two destination accounts, as one
/// atomic unit — on any failure nothing is changed, and the result names the
/// first failing check or sub-step.
pub fn mint_to(vault: &mut SaberVault, accounts: &mut MintTo, amount: u64) -> (r: Result<
    (),
    ErrorCode,
>)
    requires
        amount > 0,
    ensures
        mint_to_err(*old(vault), *old(accounts), amount) matches Some(e) ==> {
            &&& r == Err::<(), ErrorCode>(e)
            &&& *final(vault) == *old(vault)
            &&& *final(accounts) == *old(accounts)
        },
        mint_to_err(*old(vault), *old(accounts), amount) is None ==> {
            &&& r == Ok::<(), ErrorCode>(())
            &&& *final(vault) == mint_to_vault(*old(vault), amount)
            &&& *final(accounts) == mint_to_accounts(*old(accounts), amount)
        },
        vault_conserved(*old(vault)) ==> vault_conserved(*final(vault)),
{
    if accounts.token_u_from.balance < amount {
        return Err(ErrorCode::InsufficientUnderlyingFunds);
    }
    if accounts.token_u_from.mint != vault.mint_u || accounts.token_p.mint != vault.mint_p
        || accounts.token_y.mint != vault.mint_y {
        return Err(ErrorCode::InvalidAccountBinding);
    }
    if accounts.token_u_from.owner != accounts.authority {
        return Err(ErrorCode::InvalidAccountBinding);
    }
    if amount > u64::MAX - vault.reserve {
        return Err(ErrorCode::DepositUnderlyingToken);
    }
    if amount > u64::MAX - vault.supply_p || amount > u64::MAX - accounts.token_p.balance {
        return Err(ErrorCode::MintPrincipalToken);
    }
    if amount > u64::MAX - vault.supply_y || amount > u64::MAX - accounts.token_y.balance {
        return Err(ErrorCode::MintYieldToken);
    }
    // Every sub-step is now known to succeed: commit the staged effects.
    accounts.token_u_from.balance = accounts.token_u_from.balance - amount;
    vault.reserve = vault.reserve + amount;
    vault.supply_p = vault.supply_p + amount;
    accounts.token_p.balance = accounts.token_p.balance + amount;
    vault.supply_y = vault.supply_y + amount;
    accounts.token_y.balance = accounts.token_y.balance + amount;
    Ok(())
}

} // verus!
