use vstd::prelude::*;

verus! {

/// The failure kinds surfaced by the vault operations.
///
/// Every failure aborts the whole enclosing operation: the contracts of
/// `create_vault`, `mint_to` and `redeem` state that on an `Err` result no
/// vault, registry or account value has changed.
#[derive(Clone, Copy, Debug, PartialEq, Eq, Structural)]
pub enum ErrorCode {
    /// The requested deposit exceeds the depositor's available balance.
    InsufficientUnderlyingFunds,
    /// A vault for this (underlying asset, start time, end time) triple
    /// already exists, so its derived address is already occupied.
    AddressAlreadyInUse,
    /// The deposit transfer of underlying asset into the reserve failed.
    DepositUnderlyingToken,
    /// Minting the principal claim failed.
    MintPrincipalToken,
    /// Minting the yield claim failed.
    MintYieldToken,
    /// Burning the principal claim failed.
    BurnPrincipalToken,
    /// Burning the yield claim failed.
    BurnYieldToken,
    /// The withdrawal transfer of underlying asset out of the reserve failed.
    WithdrawUnderlyingToken,
    /// A supplied account does not match the asset type, owner or authority
    /// the operation requires.
    InvalidAccountBinding,
}

} // verus!
