use vstd::prelude::*;

use crate::error::ErrorCode;
use crate::identity::{derivation_exhausted, derive_vault_identity, is_derived_identity, VaultIdentity, VaultSigner};
use crate::key::Key;

verus! {

/// The ledger record of one owner's vault. The counters are audit data: the
/// spendable balance is what the vault's custody account holds.
#[derive(Clone, Copy, Debug)]
pub struct Vault {
    /// The controlling principal; fixed at creation.
    pub owner: Key,
    /// Sum of all successful deposits.
    pub total_deposited: u64,
    /// Sum of all successful withdrawals.
    pub total_withdrawn: u64,
    /// The discriminator of the vault's derived address.
    pub bump: u8,
}

impl Vault {
    /// Bytes of storage a record takes: an 8-byte header, the owner, both
    /// counters and the bump.
    pub const LEN: usize = 8 + 32 + 8 + 8 + 1;
}

/// A fresh record of `owner`, with both counters at zero.
pub open spec fn fresh_record(owner: Key, bump: u8) -> Vault {
    Vault { owner, total_deposited: 0, total_withdrawn: 0, bump }
}

/// One of the two token accounts that a transfer moves value between.
#[derive(Clone, Copy, Debug, PartialEq, Eq, Structural)]
pub enum Holder {
    /// The owner's personal token account.
    OwnerAccount,
    /// The vault's custody account, controlled by the vault's derived authority.
    VaultAccount,
}

/// Who authorizes a transfer.
#[derive(Clone, Copy, Debug)]
pub enum Authority {
    /// The owner's own signature.
    Owner(Key),
    /// The vault's derived authority.
    Vault(VaultSigner),
}

/// A transfer that the custody service is asked to make.
#[derive(Clone, Copy, Debug)]
pub struct Transfer {
    pub from: Holder,
    pub to: Holder,
    pub authority: Authority,
    pub amount: u64,
}

/// What `initialize_vault` sees: the caller, the program that owns the vault
/// addresses, and the live record at the caller's vault address, if any.
#[derive(Clone, Copy, Debug)]
pub struct InitializeVault {
    pub user: Key,
    pub program_id: Key,
    pub vault: Option<Vault>,
}

/// What `deposit_round_up` sees: the caller, the vault record and the
/// custody account's balance.
#[derive(Clone, Copy, Debug)]
pub struct DepositRoundUp {
    pub user: Key,
    pub vault: Vault,
    pub vault_balance: u64,
}

/// What `withdraw` sees: the caller, the vault record and the custody
/// account's balance.
#[derive(Clone, Copy, Debug)]
pub struct Withdraw {
    pub user: Key,
    pub vault: Vault,
    pub vault_balance: u64,
}

/// What `close_vault` sees: the caller, the vault record and the custody
/// account's balance.
#[derive(Clone, Copy, Debug)]
pub struct CloseVault {
    pub user: Key,
    pub vault: Vault,
    pub vault_balance: u64,
}

/// The error with which `initialize_vault` refuses, if it does.
pub open spec fn initialize_refusal(ctx: InitializeVault) -> Option<ErrorCode> {
    if ctx.vault is Some {
        Some(ErrorCode::AlreadyInitialized)
    } else if derivation_exhausted(ctx.user@, ctx.program_id@) {
        Some(ErrorCode::DerivationExhausted)
    } else {
        None
    }
}

/// Whether `after` is `before` with a fresh record for the caller at the
/// derived identity `id`.
pub open spec fn initialized(before: InitializeVault, after: InitializeVault, id: VaultIdentity) -> bool {
    &&& is_derived_identity(before.user@, before.program_id@, id)
    &&& after == InitializeVault {
        user: before.user,
        program_id: before.program_id,
        vault: Some(fresh_record(before.user, id.bump)),
    }
}

/// The error with which `deposit_round_up` refuses, if it does.
pub open spec fn deposit_refusal(ctx: DepositRoundUp, amount: u64) -> Option<ErrorCode> {
    if ctx.user@ != ctx.vault.owner@ {
        Some(ErrorCode::Unauthorized)
    } else if amount == 0 {
        Some(ErrorCode::InvalidAmount)
    } else if ctx.vault.total_deposited + amount > u64::MAX || ctx.vault_balance + amount
        > u64::MAX {
        Some(ErrorCode::Overflow)
    } else {
        None
    }
}

/// The state after a deposit of `amount` has gone through.
pub open spec fn deposit_next(ctx: DepositRoundUp, amount: u64) -> DepositRoundUp {
    DepositRoundUp {
        user: ctx.user,
        vault: Vault {
            owner: ctx.vault.owner,
            total_deposited: (ctx.vault.total_deposited + amount) as u64,
            total_withdrawn: ctx.vault.total_withdrawn,
            bump: ctx.vault.bump,
        },
        vault_balance: (ctx.vault_balance + amount) as u64,
    }
}

/// Whether `t` moves `amount` from the caller's account into the vault's,
/// on the caller's signature.
pub open spec fn is_deposit_transfer(t: Transfer, ctx: DepositRoundUp, amount: u64) -> bool {
    &&& t.from == Holder::OwnerAccount
    &&& t.to == Holder::VaultAccount
    &&& t.amount == amount
    &&& t.authority is Owner
    &&& t.authority->Owner_0@ == ctx.user@
}

/// The error with which `withdraw` refuses, if it does.
pub open spec fn withdraw_refusal(ctx: Withdraw, amount: u64) -> Option<ErrorCode> {
    if ctx.user@ != ctx.vault.owner@ {
        Some(ErrorCode::Unauthorized)
    } else if amount == 0 {
        Some(ErrorCode::InvalidAmount)
    } else if amount > ctx.vault_balance {
        Some(ErrorCode::InsufficientFunds)
    } else if ctx.vault.total_withdrawn + amount > u64::MAX {
        Some(ErrorCode::Overflow)
    } else {
        None
    }
}

/// The state after a withdrawal of `amount` has gone through.
pub open spec fn withdraw_next(ctx: Withdraw, amount: u64) -> Withdraw {
    Withdraw {
        user: ctx.user,
        vault: Vault {
            owner: ctx.vault.owner,
            total_deposited: ctx.vault.total_deposited,
            total_withdrawn: (ctx.vault.total_withdrawn + amount) as u64,
            bump: ctx.vault.bump,
        },
        vault_balance: (ctx.vault_balance - amount) as u64,
    }
}

/// Whether `t` moves `amount` from the vault's account to the owner's, on
/// the vault's derived authority for the record's owner and bump.
pub open spec fn is_withdraw_transfer(t: Transfer, ctx: Withdraw, amount: u64) -> bool {
    &&& t.from == Holder::VaultAccount
    &&& t.to == Holder::OwnerAccount
    &&& t.amount == amount
    &&& t.authority is Vault
    &&& t.authority->Vault_0@ == (ctx.vault.owner@, ctx.vault.bump)
}

/// The error with which `close_vault` refuses, if it does.
pub open spec fn close_refusal(ctx: CloseVault) -> Option<ErrorCode> {
    if ctx.user@ != ctx.vault.owner@ {
        Some(ErrorCode::Unauthorized)
    } else if ctx.vault_balance != 0 {
        Some(ErrorCode::VaultNotEmpty)
    } else {
        None
    }
}

/// Creates the caller's vault record: refuses where a live record exists,
/// else derives the vault's identity and stores a record with zero counters.
/// Returns the identity, at which the custody account is to be created.
pub fn initialize_vault(ctx: &mut InitializeVault) -> (r: Result<VaultIdentity, ErrorCode>)
    ensures
        match initialize_refusal(*old(ctx)) {
            Some(e) => r == Err::<VaultIdentity, ErrorCode>(e) && *final(ctx) == *old(ctx),
            None => r is Ok && initialized(*old(ctx), *final(ctx), r->Ok_0),
        },
{
    if ctx.vault.is_some() {
        return Err(ErrorCode::AlreadyInitialized);
    }
    let id = derive_vault_identity(&ctx.user, &ctx.program_id)?;
    ctx.vault = Some(Vault { owner: ctx.user, total_deposited: 0, total_withdrawn: 0, bump: id.bump });
    Ok(id)
}

/// Deposits `amount` from the caller's account into the vault. Every check,
/// the overflow check included, comes before the transfer is handed out, so
/// a refusal changes nothing. On success the record and the custody balance
/// are those after the returned transfer.
pub fn deposit_round_up(ctx: &mut DepositRoundUp, amount: u64) -> (r: Result<Transfer, ErrorCode>)
    ensures
        match deposit_refusal(*old(ctx), amount) {
            Some(e) => r == Err::<Transfer, ErrorCode>(e) && *final(ctx) == *old(ctx),
            None => r is Ok && *final(ctx) == deposit_next(*old(ctx), amount)
                && is_deposit_transfer(r->Ok_0, *old(ctx), amount),
        },
{
    if !ctx.user.same_as(&ctx.vault.owner) {
        return Err(ErrorCode::Unauthorized);
    }
    if amount == 0 {
        return Err(ErrorCode::InvalidAmount);
    }
    if amount > u64::MAX - ctx.vault.total_deposited || amount > u64::MAX - ctx.vault_balance {
        return Err(ErrorCode::Overflow);
    }
    let transfer = Transfer {
        from: Holder::OwnerAccount,
        to: Holder::VaultAccount,
        authority: Authority::Owner(ctx.user),
        amount,
    };
    ctx.vault.total_deposited = ctx.vault.total_deposited + amount;
    ctx.vault_balance = ctx.vault_balance + amount;
    Ok(transfer)
}

/// Withdraws `amount` from the vault to the owner's account, signed by the
/// vault's derived authority. The amount is checked against the custody
/// balance, not against the counters. A refusal changes nothing.
pub fn withdraw(ctx: &mut Withdraw, amount: u64) -> (r: Result<Transfer, ErrorCode>)
    ensures
        match withdraw_refusal(*old(ctx), amount) {
            Some(e) => r == Err::<Transfer, ErrorCode>(e) && *final(ctx) == *old(ctx),
            None => r is Ok && *final(ctx) == withdraw_next(*old(ctx), amount)
                && is_withdraw_transfer(r->Ok_0, *old(ctx), amount),
        },
{
    if !ctx.user.same_as(&ctx.vault.owner) {
        return Err(ErrorCode::Unauthorized);
    }
    if amount == 0 {
        return Err(ErrorCode::InvalidAmount);
    }
    if amount > ctx.vault_balance {
        return Err(ErrorCode::InsufficientFunds);
    }
    if amount > u64::MAX - ctx.vault.total_withdrawn {
        return Err(ErrorCode::Overflow);
    }
    let signer = VaultSigner::from_record(ctx.vault.owner, ctx.vault.bump);
    let transfer = Transfer {
        from: Holder::VaultAccount,
        to: Holder::OwnerAccount,
        authority: Authority::Vault(signer),
        amount,
    };
    ctx.vault.total_withdrawn = ctx.vault.total_withdrawn + amount;
    ctx.vault_balance = ctx.vault_balance - amount;
    Ok(transfer)
}

/// Closes the vault: allowed to its owner only, and only when the custody
/// account is empty. Returns the key to which the record's storage deposit
/// is refunded; the record is then released.
pub fn close_vault(ctx: &CloseVault) -> (r: Result<Key, ErrorCode>)
    ensures
        match close_refusal(*ctx) {
            Some(e) => r == Err::<Key, ErrorCode>(e),
            None => r is Ok && r->Ok_0@ == ctx.vault.owner@,
        },
{
    if !ctx.user.same_as(&ctx.vault.owner) {
        return Err(ErrorCode::Unauthorized);
    }
    if ctx.vault_balance != 0 {
        return Err(ErrorCode::VaultNotEmpty);
    }
    Ok(ctx.vault.owner)
}

} // verus!
