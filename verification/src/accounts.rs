use vstd::prelude::*;

verus! {

/// A fungible-token account of the external ledger, reduced to the fields the
/// vault logic reads and writes: the asset type it holds, the authority that
/// may move its balance, and the balance itself.
///
/// Identifiers (asset types, authorities, addresses) are plain numbers: the
/// cryptographic addressing scheme of the host is out of scope, and only
/// equality of identifiers matters to the protocol.
#[derive(Clone, Copy, Debug, PartialEq, Eq, Structural)]
pub struct TokenAccount {
    /// Asset type held by this account.
    pub mint: u64,
    /// Authority entitled to move this account's balance.
    pub owner: u64,
    /// Current balance.
    pub balance: u64,
}

/// A superposition vault: the per-term record together with the balances of
/// the three ledger records it exclusively controls (its underlying reserve
/// and the supplies of its two claim assets).
///
/// The identifying fields (`address`, `start_time`, `end_time`, `mint_u`,
/// `token_u`, `mint_p`, `mint_y`) are set at creation and never change;
/// issuance and redemption move only `reserve`, `supply_p` and `supply_y`.
#[derive(Clone, Copy, Debug, PartialEq, Eq, Structural)]
pub struct SaberVault {
    /// Address derived from (tag, `mint_u`, `start_time`, `end_time`); both
    /// the record's identity and its signing authority for the mint and
    /// transfer operations it performs on itself.
    pub address: u64,
    /// Start of the vault's term as a Unix time stamp.
    pub start_time: i64,
    /// End of the vault's term as a Unix time stamp.
    pub end_time: i64,
    /// Underlying asset type accepted for deposit.
    pub mint_u: u64,
    /// The vault's underlying reserve account, exclusively owned by `address`.
    pub token_u: u64,
    /// Principal claim asset type, minted and burned only by this vault.
    pub mint_p: u64,
    /// Yield claim asset type, minted and burned only by this vault.
    pub mint_y: u64,
    /// Balance of the underlying reserve account `token_u`.
    pub reserve: u64,
    /// Outstanding principal claims (supply of `mint_p`).
    pub supply_p: u64,
    /// Outstanding yield claims (supply of `mint_y`).
    pub supply_y: u64,
}

/// Conservation invariant: outstanding principal claims, outstanding yield
/// claims and the underlying reserve balance are all equal. It holds of a
/// fresh vault and is preserved by every issuance and redemption.
pub open spec fn vault_conserved(v: SaberVault) -> bool {
    v.supply_p == v.supply_y && v.supply_y == v.reserve
}

/// The creation request for a vault: the triple from which the vault's
/// address is derived, so that at most one vault can exist per triple.
#[derive(Clone, Copy, Debug, PartialEq, Eq, Structural)]
pub struct CreateSaberVault {
    /// Underlying asset type the new vault will accept.
    pub mint_u: u64,
    /// Start of the vault's term as a Unix time stamp.
    pub start_time: i64,
    /// End of the vault's term as a Unix time stamp.
    pub end_time: i64,
}

/// The caller-side accounts of an issuance: the depositor's underlying
/// account, the two destinations for the freshly minted claims, and the
/// signing authority of the call.
#[derive(Clone, Copy, Debug, PartialEq, Eq, Structural)]
pub struct MintTo {
    /// Signer of the call; must hold transfer authority over `token_u_from`.
    pub authority: u64,
    /// Source of funds for the underlying deposit.
    pub token_u_from: TokenAccount,
    /// Destination for the minted principal claims.
    pub token_p: TokenAccount,
    /// Destination for the minted yield claims.
    pub token_y: TokenAccount,
}

/// The caller-side accounts of a redemption: the two claim accounts to burn
/// from, the destination for the released underlying asset, and the signing
/// authority of the call.
#[derive(Clone, Copy, Debug, PartialEq, Eq, Structural)]
pub struct Redeem {
    /// Signer of the call; must hold burn authority over `token_p` and
    /// `token_y`.
    pub authority: u64,
    /// Principal claim account burned from.
    pub token_p: TokenAccount,
    /// Yield claim account burned from.
    pub token_y: TokenAccount,
    /// Destination for the withdrawn underlying asset.
    pub token_u_to: TokenAccount,
}

} // verus!
