use vstd::prelude::*;

use crate::accounts::Redeem;
use crate::accounts::SaberVault;
use crate::accounts::TokenAccount;
use crate::accounts::vault_conserved;
use crate::errors::ErrorCode;

verus! {

/// The first failing check of the redemption protocol, in protocol order, or
/// `None` when every check and every ledger sub-step succeeds.
///
/// Checks, in order: the two claim accounts hold the vault's claim asset
/// types; the caller holds burn authority over both; the destination accepts
/// the underlying asset. Then the sub-steps: the principal burn and the yield
/// burn each fail exactly when the source balance or the claim supply is
/// short of `amount`; the withdrawal transfer fails exactly when the reserve
/// is short of `amount` or the destination balance would overflow.
pub open spec fn redeem_err(v: SaberVault, a: Redeem, amount: u64) -> Option<ErrorCode> {
    if a.token_p.mint != v.mint_p || a.token_y.mint != v.mint_y {
        Some(ErrorCode::InvalidAccountBinding)
    } else if a.token_p.owner != a.authority || a.token_y.owner != a.authority {
        Some(ErrorCode::InvalidAccountBinding)
    } else if a.token_u_to.mint != v.mint_u {
        Some(ErrorCode::InvalidAccountBinding)
    } else if a.token_p.balance < amount || v.supply_p < amount {
        Some(ErrorCode::BurnPrincipalToken)
    } else if a.token_y.balance < amount || v.supply_y < amount {
        Some(ErrorCode::BurnYieldToken)
    } else if v.reserve < amount || a.token_u_to.balance + amount > u64::MAX {
        Some(ErrorCode::WithdrawUnderlyingToken)
    } else {
        None
    }
}

/// The vault after a successful redemption of `amount`: the reserve and both
/// claim supplies shrink by exactly `amount`; the identifying fields are
/// untouched.
pub open spec fn redeem_vault(v: SaberVault, amount: u64) -> SaberVault
    recommends
        amount <= v.reserve,
        amount <= v.supply_p,
        amount <= v.supply_y,
{
    SaberVault {
        reserve: (v.reserve - amount) as u64,
        supply_p: (v.supply_p - amount) as u64,
        supply_y: (v.supply_y - amount) as u64,
        ..v
    }
}

/// The caller-side accounts after a successful redemption of `amount`: each
/// claim account loses `amount`, the underlying destination gains `amount`.
pub open spec fn redeem_accounts(a: Redeem, amount: u64) -> Redeem
    recommends
        amount <= a.token_p.balance,
        amount <= a.token_y.balance,
        a.token_u_to.balance + amount <= u64::MAX,
{
    Redeem {
        token_p: TokenAccount { balance: (a.token_p.balance - amount) as u64, ..a.token_p },
        token_y: TokenAccount { balance: (a.token_y.balance - amount) as u64, ..a.token_y },
        token_u_to: TokenAccount {
            balance: (a.token_u_to.balance + amount) as u64,
            ..a.token_u_to
        },
        ..a
    }
}

/// Redemption: burns `amount` of the principal claim and `amount` of the
/// yield claim from the two source accounts and releases `amount` of
/// underlying asset from the vault's reserve to the destination, as one
/// atomic unit — on any failure nothing is changed, and the result names the
/// first failing check or sub-step. The ratio is fixed at 1:1:1: the same
/// `amount` leaves both claim supplies and the reserve.
pub fn redeem(vault: &mut SaberVault, accounts: &mut Redeem, amount: u64) -> (r: Result<
    (),
    ErrorCode,
>)
    requires
        amount > 0,
    ensures
        redeem_err(*old(vault), *old(accounts), amount) matches Some(e) ==> {
            &&& r == Err::<(), ErrorCode>(e)
            &&& *final(vault) == *old(vault)
            &&& *final(accounts) == *old(accounts)
        },
        redeem_err(*old(vault), *old(accounts), amount) is None ==> {
            &&& r == Ok::<(), ErrorCode>(())
            &&& *final(vault) == redeem_vault(*old(vault), amount)
            &&& *final(accounts) == redeem_accounts(*old(accounts), amount)
        },
        vault_conserved(*old(vault)) ==> vault_conserved(*final(vault)),
{
    if accounts.token_p.mint != vault.mint_p || accounts.token_y.mint != vault.mint_y {
        return Err(ErrorCode::InvalidAccountBinding);
    }
    if accounts.token_p.owner != accounts.authority
        || accounts.token_y.owner != accounts.authority {
        return Err(ErrorCode::InvalidAccountBinding);
    }
    if accounts.token_u_to.mint != vault.mint_u {
        return Err(ErrorCode::InvalidAccountBinding);
    }
    if accounts.token_p.balance < amount || vault.supply_p < amount {
        return Err(ErrorCode::BurnPrincipalToken);
    }
    if accounts.token_y.balance < amount || vault.supply_y < amount {
        return Err(ErrorCode::BurnYieldToken);
    }
    if vault.reserve < amount || amount > u64::MAX - accounts.token_u_to.balance {
        return Err(ErrorCode::WithdrawUnderlyingToken);
    }
    // Every sub-step is now known to succeed: commit the staged effects.
    accounts.token_p.balance = accounts.token_p.balance - amount;
    vault.supply_p = vault.supply_p - amount;
    accounts.token_y.balance = accounts.token_y.balance - amount;
    vault.supply_y = vault.supply_y - amount;
    vault.reserve = vault.reserve - amount;
    accounts.token_u_to.balance = accounts.token_u_to.balance + amount;
    Ok(())
}

} // verus!
