//! A per-owner custodial vault: the identity of each vault, its ledger record,
//! and the decisions of its four operations (initialize, deposit, withdraw,
//! close). The token transfers themselves are carried out by the custody
//! service; the library says which transfer to make and how the record changes.
pub mod error;
pub mod identity;
pub mod key;
pub mod laws;
pub mod vault;

pub use error::ErrorCode;
pub use identity::{derive_vault_identity, VaultIdentity, VaultSigner};
pub use key::Key;
pub use vault::{
    close_vault, deposit_round_up, initialize_vault, withdraw, Authority, CloseVault,
    DepositRoundUp, Holder, InitializeVault, Transfer, Vault, Withdraw,
};
