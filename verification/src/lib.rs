//! A yield/principal-splitting vault: a ledger construct that, for a deposit
//! of an underlying asset over a fixed time window, issues a principal claim
//! and a yield claim in amounts equal to the deposit, and later redeems the
//! two claims jointly for the underlying asset.
//!
//! The external fungible-token ledger, account allocation and the
//! cryptographic address derivation are collaborators of the host execution
//! environment; here they are modelled by plain values (`accounts`), so that
//! the vault's state-transition logic — deterministic vault addressing, the
//! deposit/mint protocol and the burn/withdraw protocol — is verified in
//! full, together with its conservation and uniqueness invariants.

pub mod accounts;
pub mod errors;
pub mod issuance;
pub mod laws;
pub mod redemption;
pub mod registry;

pub use crate::accounts::CreateSaberVault;
pub use crate::accounts::MintTo;
pub use crate::accounts::Redeem;
pub use crate::accounts::SaberVault;
pub use crate::accounts::TokenAccount;
pub use crate::errors::ErrorCode;
pub use crate::issuance::mint_to;
pub use crate::redemption::redeem;
pub use crate::registry::create_vault;
pub use crate::registry::VaultRegistry;
