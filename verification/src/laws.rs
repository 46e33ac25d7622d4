use vstd::prelude::*;

use crate::accounts::CreateSaberVault;
use crate::accounts::MintTo;
use crate::accounts::Redeem;
use crate::accounts::SaberVault;
use crate::accounts::vault_conserved;
use crate::errors::ErrorCode;
use crate::issuance::mint_to_accounts;
use crate::issuance::mint_to_err;
use crate::issuance::mint_to_vault;
use crate::redemption::redeem_accounts;
use crate::redemption::redeem_err;
use crate::redemption::redeem_vault;
use crate::registry::VaultRegistry;
use crate::registry::create_vault_err;

verus! {

/// One issuance or redemption call against a vault, with the caller-side
/// accounts and the amount it names.
pub enum VaultOp {
    /// An issuance call.
    Issue(MintTo, u64),
    /// A redemption call.
    Redeem(Redeem, u64),
}

/// The vault after one call: a successful call applies its effect, a failing
/// call aborts and leaves the vault exactly as it was.
pub open spec fn apply_op(v: SaberVault, op: VaultOp) -> SaberVault {
    match op {
        VaultOp::Issue(a, amount) => if mint_to_err(v, a, amount) is None {
            mint_to_vault(v, amount)
        } else {
            v
        },
        VaultOp::Redeem(a, amount) => if redeem_err(v, a, amount) is None {
            redeem_vault(v, amount)
        } else {
            v
        },
    }
}

/// The vault after a sequence of calls, applied in order.
pub open spec fn apply_ops(v: SaberVault, ops: Seq<VaultOp>) -> SaberVault
    decreases ops.len(),
{
    if ops.len() == 0 {
        v
    } else {
        apply_ops(apply_op(v, ops[0]), ops.subrange(1, ops.len() as int))
    }
}

/// Conservation, one step: any single issuance or redemption call — whether
/// it succeeds or aborts — preserves the equality of outstanding principal
/// claims, outstanding yield claims and the reserve balance.
pub proof fn lemma_op_preserves_conservation(v: SaberVault, op: VaultOp)
    requires
        vault_conserved(v),
    ensures
        vault_conserved(apply_op(v, op)),
{
}

/// Conservation: after every prefix of an arbitrary sequence of issuance and
/// redemption calls against a conserved vault, outstanding principal claims,
/// outstanding yield claims and the reserve balance are still all equal.
pub proof fn lemma_conservation(v: SaberVault, ops: Seq<VaultOp>)
    requires
        vault_conserved(v),
    ensures
        vault_conserved(apply_ops(v, ops)),
    decreases ops.len(),
{
    if ops.len() > 0 {
        lemma_op_preserves_conservation(v, ops[0]);
        lemma_conservation(apply_op(v, ops[0]), ops.subrange(1, ops.len() as int));
    }
}

/// Single vault per triple: once a creation for a triple has been recorded —
/// `reg1` is the registry a successful creation of `req` left behind — a
/// second creation with the identical triple fails with
/// `AddressAlreadyInUse`.
pub proof fn lemma_single_vault_per_triple(
    reg: VaultRegistry,
    reg1: VaultRegistry,
    req: CreateSaberVault,
)
    requires
        reg1.created@ == reg.created@.push(req),
    ensures
        create_vault_err(reg1, req) == Some(ErrorCode::AddressAlreadyInUse),
{
    assert(reg1.created@[reg.created@.len() as int] == req);
}

/// Redemption symmetry: a redemption of `amount` succeeds only when both
/// claim accounts hold at least `amount`, and a successful redemption
/// decreases both claim supplies and the reserve by exactly `amount`.
pub proof fn lemma_redeem_symmetry(v: SaberVault, a: Redeem, amount: u64)
    requires
        redeem_err(v, a, amount) is None,
    ensures
        a.token_p.balance >= amount,
        a.token_y.balance >= amount,
        redeem_vault(v, amount).supply_p == v.supply_p - amount,
        redeem_vault(v, amount).supply_y == v.supply_y - amount,
        redeem_vault(v, amount).reserve == v.reserve - amount,
{
}

/// Round trip: issuing `amount` against a conserved vault with no
/// outstanding claims, then redeeming the minted claims back into the
/// depositor's account, succeeds and restores the depositor's underlying
/// balance to its pre-issuance value, leaving both claim supplies and the
/// reserve at zero.
pub proof fn lemma_round_trip(v: SaberVault, a: MintTo, amount: u64)
    requires
        vault_conserved(v),
        v.supply_p == 0,
        mint_to_err(v, a, amount) is None,
        a.token_p.owner == a.authority,
        a.token_y.owner == a.authority,
    ensures
        ({
            let v1 = mint_to_vault(v, amount);
            let a1 = mint_to_accounts(a, amount);
            let b = (Redeem {
                authority: a.authority,
                token_p: a1.token_p,
                token_y: a1.token_y,
                token_u_to: a1.token_u_from,
            });
            &&& redeem_err(v1, b, amount) is None
            &&& redeem_accounts(b, amount).token_u_to.balance == a.token_u_from.balance
            &&& redeem_vault(v1, amount).supply_p == 0
            &&& redeem_vault(v1, amount).supply_y == 0
            &&& redeem_vault(v1, amount).reserve == 0
        }),
{
}

} // verus!
