use vstd::prelude::*;

verus! {

/// The ways an operation on a vault can fail. Every one is terminal: nothing
/// is retried.
#[derive(Clone, Copy, Debug, PartialEq, Eq, Structural)]
pub enum ErrorCode {
    /// The amount is zero.
    InvalidAmount,
    /// A withdrawal asks for more than the vault's custody account holds.
    InsufficientFunds,
    /// The caller is not the owner named in the vault record.
    Unauthorized,
    /// A counter or a balance would leave the 64-bit range.
    Overflow,
    /// The vault's custody account still holds tokens.
    VaultNotEmpty,
    /// A live vault record already exists for this owner.
    AlreadyInitialized,
    /// No bump in 0..=255 gives a valid derived address.
    DerivationExhausted,
    /// The custody service refused the transfer.
    TransferError,
}

} // verus!
